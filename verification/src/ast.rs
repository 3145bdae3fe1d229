//! The vim9script syntax tree that the generator reads.
//!
//! Each node holds, as plain values, exactly what the generator reads of it:
//! a token is kept as its text, a boolean or a nested node.
//!
//! Function calls, method calls and the `call` command have no node here;
//! a program that holds one is not represented, and a front end reports it
//! as one that cannot be translated.
use vstd::prelude::*;

verus! {

/// A token of the source kept by its text.
#[derive(Debug)]
pub struct Literal {
    pub text: String,
}

/// A token that the parser kept as a no-op: whether it is white space,
/// and its debug rendering, which is what the generator emits for it.
#[derive(Debug)]
pub struct NoOpToken {
    pub is_whitespace: bool,
    pub debug_text: String,
}

/// The scope prefix of a scoped variable (`g:`, `v:`, `b:`, ...).
#[derive(Debug, Clone, Copy)]
pub enum VimScope {
    Global,
    VimVar,
    Buffer,
    Window,
    Tab,
    Script,
    Local,
}

#[derive(Debug)]
pub struct RawIdentifier {
    pub name: String,
}

#[derive(Debug)]
pub struct ScopedIdentifier {
    pub scope: VimScope,
    pub accessor: Box<Identifier>,
}

#[derive(Debug)]
pub enum Identifier {
    Raw(RawIdentifier),
    Scope(ScopedIdentifier),
    /// A list of names unpacked at once (`[a, b] = ...`).
    Unpacked(Vec<Identifier>),
}

/// Binary and prefix operators.
#[derive(Debug)]
pub enum Operator {
    Plus,
    Minus,
    Multiply,
    Divide,
    Modulo,
    StringConcat,
    And,
    Or,
    EqualTo,
    LessThan,
    GreaterThan,
    LessThanOrEqual,
    GreaterThanOrEqual,
    Bang,
    /// Any other operator, by its name; it is generated under that name.
    Named(String),
}

#[derive(Debug)]
pub struct VimNumber {
    pub value: String,
}

#[derive(Debug)]
pub enum VimString {
    SingleQuote(String),
    DoubleQuote(String),
}

#[derive(Debug)]
pub struct VimBoolean {
    pub value: bool,
}

#[derive(Debug)]
pub struct GroupedExpression {
    pub expr: Box<Expression>,
}

#[derive(Debug)]
pub struct PrefixExpression {
    pub operator: Operator,
    pub right: Box<Expression>,
}

#[derive(Debug)]
pub struct InfixExpression {
    pub operator: Operator,
    pub left: Box<Expression>,
    pub right: Box<Expression>,
}

#[derive(Debug)]
pub struct ArrayLiteral {
    pub elements: Vec<Expression>,
}

#[derive(Debug)]
pub enum VimKey {
    Literal(Literal),
}

#[derive(Debug)]
pub struct KeyValue {
    pub key: VimKey,
    pub value: Expression,
}

#[derive(Debug)]
pub struct DictLiteral {
    pub elements: Vec<KeyValue>,
}

#[derive(Debug)]
pub struct VimOption {
    pub option: Literal,
}

/// `start:finish` inside an index; either bound may be missing.
#[derive(Debug)]
pub struct VimSlice {
    pub start: Option<Box<Expression>>,
    pub finish: Option<Box<Expression>>,
}

#[derive(Debug)]
pub enum IndexType {
    Item(Expression),
    Slice(VimSlice),
}

#[derive(Debug)]
pub struct IndexExpression {
    pub container: Box<Expression>,
    pub index: Box<IndexType>,
}

#[derive(Debug)]
pub struct DictAccess {
    pub container: Box<Expression>,
    pub index: Literal,
}

/// A register read (`@a`).
#[derive(Debug)]
pub struct Register {
    pub register: String,
}

#[derive(Debug)]
pub struct Param {
    pub name: Identifier,
    pub default_val: Option<Expression>,
}

#[derive(Debug)]
pub struct Signature {
    pub params: Vec<Param>,
}

#[derive(Debug)]
pub struct Lambda {
    pub args: Signature,
    pub body: Box<Expression>,
}

/// `<q-args>`, `<q-mods>`, `<q-bang>`, `<sfile>` and the like.
#[derive(Debug)]
pub struct Expandable {
    pub ident: Identifier,
}

#[derive(Debug)]
pub struct Ternary {
    pub cond: Box<Expression>,
    pub if_true: Box<Expression>,
    pub if_false: Box<Expression>,
}

#[derive(Debug)]
pub enum Expression {
    Empty,
    Identifier(Identifier),
    Number(VimNumber),
    String(VimString),
    Boolean(VimBoolean),
    Grouped(GroupedExpression),
    Prefix(PrefixExpression),
    Infix(InfixExpression),
    Array(ArrayLiteral),
    Dict(DictLiteral),
    VimOption(VimOption),
    Index(IndexExpression),
    /// A slice on its own; it only has a meaning inside an index.
    Slice(VimSlice),
    DictAccess(DictAccess),
    Register(Register),
    Lambda(Lambda),
    Expandable(Expandable),
    Ternary(Ternary),
}

/// The declared type of a variable.
#[derive(Debug, Clone, Copy)]
pub enum InnerType {
    Any,
    Bool,
    Number,
    String,
    Blob,
    List,
    Dict,
    Func,
    Void,
}

#[derive(Debug)]
pub struct Type {
    pub inner: InnerType,
}

#[derive(Debug)]
pub struct Vim9ScriptCommand {
    pub noclear: bool,
}

#[derive(Debug)]
pub struct VarCommand {
    pub name: Identifier,
    pub ty: Option<Type>,
    pub expr: Expression,
}

#[derive(Debug)]
pub struct EchoCommand {
    pub expr: Expression,
}

#[derive(Debug)]
pub struct AssignStatement {
    pub left: Expression,
    pub right: Expression,
}

/// The compound assignment operators (`+=`, `-=`, `*=`, `/=`, `%=`, `..=`).
#[derive(Debug, Clone, Copy)]
pub enum MutationModifier {
    PlusEquals,
    MinusEquals,
    MulEquals,
    DivEquals,
    PercentEquals,
    StringConcatEquals,
}

#[derive(Debug)]
pub struct MutationStatement {
    pub left: Expression,
    pub modifier: MutationModifier,
    pub right: Expression,
}

#[derive(Debug)]
pub enum StatementCommand {
    Assign(AssignStatement),
    Mutate(MutationStatement),
}

#[derive(Debug)]
pub struct ReturnCommand {
    pub expr: Option<Expression>,
}

#[derive(Debug)]
pub struct Body {
    pub commands: Vec<ExCommand>,
}

#[derive(Debug)]
pub struct DefCommand {
    pub name: Identifier,
    pub args: Signature,
    pub body: Body,
}

#[derive(Debug)]
pub struct ElseIfCommand {
    pub condition: Expression,
    pub body: Body,
}

#[derive(Debug)]
pub struct ElseCommand {
    pub body: Body,
}

#[derive(Debug)]
pub struct IfCommand {
    pub condition: Expression,
    pub body: Body,
    pub elseifs: Vec<ElseIfCommand>,
    pub else_command: Option<ElseCommand>,
}

#[derive(Debug)]
pub struct AugroupCommand {
    pub augroup_name: Literal,
    pub body: Body,
}

/// What an autocommand runs: a single command or a `{ ... }` block.
#[derive(Debug)]
pub enum AutocmdBlock {
    Command(Box<ExCommand>),
    Block(Body),
}

#[derive(Debug)]
pub struct AutocmdCommand {
    pub events: Vec<Literal>,
    pub block: AutocmdBlock,
}

#[derive(Debug)]
pub struct DeclCommand {
    pub name: Identifier,
}

#[derive(Debug)]
pub struct Heredoc {
    pub name: Identifier,
    pub trim: bool,
    pub contents: Vec<String>,
}

#[derive(Debug)]
pub struct UserCommand {
    pub name: String,
    pub command: Box<ExCommand>,
    pub command_nargs: Option<String>,
    pub command_bang: bool,
}

#[derive(Debug)]
pub struct EvalCommand {
    pub expr: Expression,
}

/// Legacy Vim script passed through unchanged.
#[derive(Debug)]
pub struct SharedCommand {
    pub contents: String,
}

#[derive(Debug)]
pub struct ExportCommand {
    pub command: Box<ExCommand>,
}

#[derive(Debug)]
pub enum ImportCommand {
    ImportImplicit { file: String, name: Option<Identifier>, autoload: bool },
    ImportUnpacked { names: Vec<Identifier>, file: String },
}

#[derive(Debug)]
pub struct ForCommand {
    pub for_identifier: Identifier,
    pub for_expr: Expression,
    pub body: Body,
}

#[derive(Debug)]
pub struct TryCommand {
    pub body: Body,
}

#[derive(Debug)]
pub struct WhileCommand {
    pub condition: Expression,
    pub body: Body,
}

#[derive(Debug)]
pub struct BreakCommand {}

#[derive(Debug)]
pub enum ExCommand {
    Vim9Script(Vim9ScriptCommand),
    Var(VarCommand),
    Echo(EchoCommand),
    Statement(StatementCommand),
    Return(ReturnCommand),
    Def(DefCommand),
    If(IfCommand),
    Augroup(AugroupCommand),
    Autocmd(AutocmdCommand),
    Decl(DeclCommand),
    Comment(Literal),
    NoOp(NoOpToken),
    Heredoc(Heredoc),
    UserCommand(UserCommand),
    Eval(EvalCommand),
    SharedCommand(SharedCommand),
    ExportCommand(ExportCommand),
    ImportCommand(ImportCommand),
    Finish,
    For(ForCommand),
    Try(TryCommand),
    While(WhileCommand),
    Break(BreakCommand),
    Skip,
    EndOfFile,
}

/// A parsed vim9script file.
#[derive(Debug)]
pub struct Program {
    pub commands: Vec<ExCommand>,
}

} // verus!
